use crate::mc::artist::AnyArtist;
use crate::mc::label::Brand;
use crate::mc::util::{CacheDetails, Link};
use crate::text::{uuid_string, uuid_text};
use iso8601_timestamp::Timestamp;
use vstd::prelude::*;

verus! {

/// The identifier of a release: the 128-bit value of its UUID.
#[derive(Clone, Copy, Debug, PartialEq, Eq, Structural)]
pub struct ReleaseID(pub u128);

impl ReleaseID {
    /// The identifier as the service writes it.
    pub fn to_string(&self) -> (s: String)
        ensures
            s@ == uuid_text(self.0),
    {
        uuid_string(self.0)
    }
}

/// The identifier of a track: the 128-bit value of its UUID.
#[derive(Clone, Copy, Debug, PartialEq, Eq, Structural)]
pub struct TrackID(pub u128);

impl TrackID {
    /// The identifier as the service writes it.
    pub fn to_string(&self) -> (s: String)
        ensures
            s@ == uuid_text(self.0),
    {
        uuid_string(self.0)
    }
}

/// The identifier of a release in the catalog.
#[derive(Clone, Debug, PartialEq)]
pub struct CatalogID(pub String);

impl View for CatalogID {
    type V = Seq<char>;

    open spec fn view(&self) -> Seq<char> {
        self.0@
    }
}

impl CatalogID {
    /// The identifier as the service writes it.
    pub fn to_string(&self) -> (s: String)
        ensures
            s@ == self@,
    {
        self.0.clone()
    }
}

/// A release, or a track of one.
#[derive(Clone, Debug)]
pub enum AnyRelease {
    Release(Release),
    Track(Track),
}

impl AnyRelease {
    /// The kind of the release; a track is of the kind "Track".
    pub fn get_type(&self) -> (kind: &str)
        ensures
            kind@ == match *self {
                AnyRelease::Release(a) => a.kind@,
                AnyRelease::Track(_) => "Track"@,
            },
    {
        match self {
            AnyRelease::Release(a) => a.kind.as_str(),
            AnyRelease::Track(_) => "Track",
        }
    }

    /// The title.
    pub fn get_title(&self) -> (title: &str)
        ensures
            title@ == match *self {
                AnyRelease::Release(a) => a.title@,
                AnyRelease::Track(t) => t.title@,
            },
    {
        match self {
            AnyRelease::Release(a) => a.title.as_str(),
            AnyRelease::Track(t) => t.title.as_str(),
        }
    }

    /// The artists, as the title names them.
    pub fn get_artists(&self) -> (artists: &str)
        ensures
            artists@ == match *self {
                AnyRelease::Release(a) => a.artists_title@,
                AnyRelease::Track(t) => t.artists_title@,
            },
    {
        match self {
            AnyRelease::Release(a) => a.artists_title.as_str(),
            AnyRelease::Track(t) => t.artists_title.as_str(),
        }
    }

    /// The date of the release; for a track, that of its release.
    pub fn get_date(&self) -> (date: &Timestamp)
        ensures
            *date == match *self {
                AnyRelease::Release(a) => a.release_date,
                AnyRelease::Track(t) => t.release.release_date,
            },
    {
        match self {
            AnyRelease::Release(a) => &a.release_date,
            AnyRelease::Track(t) => &t.release.release_date,
        }
    }

    /// The identifier of the release; for a track, that of its release.
    pub fn get_release_id(&self) -> (id: &ReleaseID)
        ensures
            *id == match *self {
                AnyRelease::Release(release) => release.id,
                AnyRelease::Track(track) => track.release.id,
            },
    {
        match self {
            AnyRelease::Release(release) => &release.id,
            AnyRelease::Track(track) => &track.release.id,
        }
    }
}

/// A release, in the fullest form that the service gives.
#[derive(Clone, Debug)]
pub struct Release {
    pub album_notes: Option<String>,
    pub artists: Option<Vec<AnyArtist>>,
    pub artists_title: String,
    pub brand_id: Option<Brand>,
    pub brand_title: Option<String>,
    pub cache_details: Option<CacheDetails>,
    pub catalog_id: CatalogID,
    pub copyright_p_line: Option<String>,
    pub cover_file_id: Option<String>,
    pub description: String,
    pub downloadable: Option<bool>,
    pub featured_artists_title: String,
    pub grid: Option<String>,
    pub genre_primary: Option<String>,
    pub genre_secondary: Option<String>,
    pub id: ReleaseID,
    pub in_early_access: Option<bool>,
    pub links: Option<Vec<Link>>,
    pub prerelease_date: Option<Timestamp>,
    pub presave_date: Option<Timestamp>,
    pub release_date: Timestamp,
    pub release_date_timezone: String,
    pub spotify_id: Option<String>,
    pub streamable: Option<bool>,
    pub tags: Option<Vec<String>>,
    pub title: String,
    pub tracks: Option<Vec<Track>>,
    pub kind: String,
    pub upc: Option<String>,
    pub version: String,
    pub youtube_url: Option<String>,
}

/// A release in short.
#[derive(Clone, Debug, PartialEq)]
pub struct ReleaseSummary {
    pub artists_title: String,
    pub catalog_id: String,
    pub copyright_p_line: Option<String>,
    pub description: String,
    pub id: ReleaseID,
    pub release_date: Timestamp,
    pub release_date_timezone: String,
    pub tags: Option<Vec<String>>,
    pub title: String,
    pub kind: String,
    pub upc: Option<String>,
    pub version: String,
}

/// A track of a release.
#[derive(Clone, Debug)]
pub struct Track {
    pub artists: Option<Vec<AnyArtist>>,
    pub artists_title: String,
    pub bpm: usize,
    pub brand: String,
    pub brand_id: usize,
    pub creator_friendly: bool,
    pub debut_date: Option<Timestamp>,
    pub downloadable: bool,
    pub duration: usize,
    pub explicit: bool,
    pub genre_primary: String,
    pub genre_secondary: String,
    pub isrc: String,
    pub id: TrackID,
    pub in_early_access: bool,
    pub lock_status: String,
    pub public: bool,
    pub playlist_sort: Option<u32>,
    pub release: ReleaseSummary,
    pub streamable: bool,
    pub tags: Option<Vec<String>>,
    pub title: String,
    pub track_number: usize,
    pub version: String,
}

} // verus!
